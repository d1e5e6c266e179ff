//! The path-selection table for the external setup executable: one
//! relative path per supported operating system, with the entry for the
//! current build target.

use vstd::prelude::*;

verus! {

/// The operating systems a setup executable ships for.
pub enum HostOs {
    Windows,
    Linux,
}

/// The relative path of the setup executable for each supported
/// operating system.
pub fn setup_script_path_for(os: HostOs) -> (p: String)
    ensures
        os is Windows ==> p@ == "../../script/windows/quill-setup-windows-x86_64.exe"@,
        os is Linux ==> p@ == "../../script/linux/quill-setup-linux-x86_64"@,
{
    match os {
        HostOs::Windows => String::from_str(
            "../../script/windows/quill-setup-windows-x86_64.exe",
        ),
        HostOs::Linux => String::from_str("../../script/linux/quill-setup-linux-x86_64"),
    }
}

/// The table entry compiled into this build, which targets Linux.
pub fn get_setup_script_path() -> (p: String)
    ensures
        p@ == "../../script/linux/quill-setup-linux-x86_64"@,
{
    setup_script_path_for(HostOs::Linux)
}

} // verus!
