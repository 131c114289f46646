//! Locating the realm directory of the component hub.
//!
//! On a system with a `sys` realm the user realms sit one level further down,
//! under the first entry of `/hub/r/sys`; otherwise they sit under `/hub/r`.
//! The caller probes the file system; this module decides the path.

use vstd::prelude::*;
use vstd::string::*;

verus! {

/// What probing `/hub/r/sys` found.
#[derive(Clone, Debug, PartialEq, Eq)]
pub enum SysProbe {
    /// `/hub/r/sys` does not exist.
    Absent,
    /// The path of its first entry.
    FirstEntry { path: String },
    /// It exists but no entry could be read from it.
    NoEntry,
}

/// Why no realm directory was found.
#[derive(Clone, Copy, Debug, PartialEq, Eq, Structural)]
pub enum HubError {
    /// `/hub/r/sys` exists but holds no readable entry.
    NoSysEntry,
}

/// `path` with the component `r` appended: a `/` goes between the two
/// unless `path` is empty or already ends in one.
pub open spec fn join_r(path: Seq<char>) -> Seq<char> {
    if path.len() == 0 || path.last() == '/' {
        path + seq!['r']
    } else {
        path + seq!['/', 'r']
    }
}

/// Decides the realm directory from the probe of `/hub/r/sys`.
pub fn find_r_directory(probe: &SysProbe) -> (r: Result<String, HubError>)
    ensures
        match probe {
            SysProbe::Absent => r matches Ok(p) && p@ == "/hub/r"@,
            SysProbe::FirstEntry { path } => r matches Ok(p) && p@ == join_r(path@),
            SysProbe::NoEntry => r == Err::<String, HubError>(HubError::NoSysEntry),
        },
{
    match probe {
        SysProbe::Absent => Ok(String::from_str("/hub/r")),
        SysProbe::FirstEntry { path } => {
            let s = path.as_str();
            let n = s.unicode_len();
            proof {
                reveal_strlit("r");
                reveal_strlit("/r");
            }
            if n == 0 || s.get_char(n - 1) == '/' {
                Ok(String::from_str(s).concat("r"))
            } else {
                Ok(String::from_str(s).concat("/r"))
            }
        },
        SysProbe::NoEntry => Err(HubError::NoSysEntry),
    }
}

} // verus!
