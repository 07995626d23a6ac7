//! File plans produced by the provisioning logic.
//!
//! The provisioning functions decide which files must exist and with what
//! content — Salt state files, managed configuration files, the RPC policy —
//! but never touch the file system themselves. They return a plan: the files
//! to write and the per-VM state sets to apply. The caller performs the
//! writes and hands the state sets to Salt.

use crate::salt::SlsVmComplement;
use vstd::prelude::*;

verus! {

/// The directory a file goes to: the custom one when given, the default
/// otherwise.
pub open spec fn spec_base_dir(dir: Option<String>, default: Seq<char>) -> Seq<char> {
    match dir {
        Some(d) => d@,
        None => default,
    }
}

/// A managed file's path: under the custom files directory when given, else
/// under `/srv/salt/files`.
pub open spec fn spec_files_path(files_dir: Option<String>, rel: Seq<char>) -> Seq<char> {
    spec_base_dir(files_dir, "/srv/salt/files"@) + rel
}

/// A state file's path: under the custom states directory when given, else
/// under `/srv/salt`.
pub open spec fn spec_states_path(states_dir: Option<String>, rel: Seq<char>) -> Seq<char> {
    spec_base_dir(states_dir, "/srv/salt"@) + rel
}

/// One file to write: where, and what.
pub struct FileWrite {
    pub path: String,
    pub content: String,
}

/// Everything one provisioning step asks for: the files to write, in order,
/// and the state sets they make applicable.
pub struct MaintPlan {
    pub writes: Vec<FileWrite>,
    pub complements: Vec<SlsVmComplement>,
}

} // verus!
