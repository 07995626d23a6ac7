//! Where the debug log sink lives.
//!
//! Logs go to one directory per application: `$XDG_STATE_HOME/<name>` when
//! that variable is set, `$HOME/.local/state/<name>` otherwise. The caller
//! reads the two environment variables and appends to the files; this module
//! only decides the path.

use vstd::prelude::*;
use vstd::string::StringExecFns;

verus! {

/// Neither `XDG_STATE_HOME` nor `HOME` is set: there is nowhere to log.
#[derive(Clone, Copy, Debug, PartialEq, Eq, Structural)]
pub struct NoStateHome;

/// The log directory for `dir_name`, given the values of `XDG_STATE_HOME`
/// and `HOME`: the XDG state home when set, else `.local/state` under the
/// home directory, else an error.
pub fn xdg_state_dir(xdg_dir: &Option<String>, home: &Option<String>, dir_name: &str) -> (r: Result<
    String,
    NoStateHome,
>)
    ensures
        r is Ok <==> xdg_dir is Some || home is Some,
        r matches Ok(out) ==> out@ == (match *xdg_dir {
            Some(x) => x@ + "/"@ + dir_name@,
            None => (match *home {
                Some(h) => h@ + "/.local/state/"@ + dir_name@,
                None => Seq::<char>::empty(),
            }),
        }),
{
    match xdg_dir {
        Some(x) => {
            let mut out = x.clone();
            out.append("/");
            out.append(dir_name);
            Ok(out)
        },
        None => match home {
            Some(h) => {
                let mut out = h.clone();
                out.append("/.local/state/");
                out.append(dir_name);
                Ok(out)
            },
            None => Err(NoStateHome),
        },
    }
}

} // verus!
