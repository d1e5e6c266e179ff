//! The build-time checklist and extra-argument constants handed to the
//! external setup executable.

use vstd::prelude::*;

verus! {

/// The labels of the install options offered on the checklist, in the
/// order their booleans are passed to the setup executable.
pub fn checklist_labels() -> (v: Vec<String>)
    ensures
        v@.len() == 3,
        v@[0]@ == "Install Dependencies"@,
        v@[1]@ == "Register File Types (Requires Admin)"@,
        v@[2]@ == "Create launcher and update PATH"@,
{
    let mut v: Vec<String> = Vec::new();
    v.push(String::from_str("Install Dependencies"));
    v.push(String::from_str("Register File Types (Requires Admin)"));
    v.push(String::from_str("Create launcher and update PATH"));
    v
}

/// The fixed extra arguments appended after the checklist booleans.
/// This build defines none.
pub fn custom_args() -> (v: Vec<String>)
    ensures
        v@.len() == 0,
{
    Vec::new()
}

} // verus!
