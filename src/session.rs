use vstd::prelude::*;

use crate::error::Error;
use crate::text::{numeral, parse_u16};

verus! {

/// Where a session is connected: the destination as given, and the user
/// and port that were resolved for it.
pub struct Target {
    pub user: Option<String>,
    pub port: Option<u16>,
    pub destination: String,
}

/// The port that a resolved port string names, if it is a valid one.
pub open spec fn port_of(port: Seq<char>) -> Option<u16> {
    match numeral(port) {
        Some(v) => if v <= u16::MAX {
            Some(v as u16)
        } else {
            None
        },
        None => None,
    }
}

impl Target {
    /// The target of a session from what the connection resolved; a port
    /// that is not a number in `0..=65535` is refused.
    pub fn new(user: Option<&str>, port: Option<&str>, destination: &str) -> (r: Result<
        Target,
        Error,
    >)
        ensures
            r is Err <==> (port matches Some(p) && port_of(p@) is None),
            r is Err ==> r == Err::<Target, Error>(Error::InvalidPort),
            r matches Ok(t) ==> {
                &&& t.destination@ == destination@
                &&& t.port == match port {
                    Some(p) => port_of(p@),
                    None => None,
                }
                &&& match user {
                    Some(u) => t.user matches Some(v) && v@ == u@,
                    None => t.user is None,
                }
            },
    {
        let port = match port {
            Some(p) => match parse_u16(p) {
                Some(n) => Some(n),
                None => return Err(Error::InvalidPort),
            },
            None => None,
        };
        let user = match user {
            Some(u) => Some(u.to_owned()),
            None => None,
        };
        Ok(Target { user, port, destination: destination.to_owned() })
    }
}

/// What the remote file system said of a path.
pub enum PathStat {
    /// The path exists; whether it is a directory, if the file type was given.
    Found { is_dir: Option<bool> },
    /// The query failed; `no_such_file` tells whether because the path does not exist.
    Failed { no_such_file: bool, message: String },
}

/// Whether a path exists, from what the file system said of it: it does when
/// the query succeeded, it does not when the query failed because there is no
/// such file, and any other failure is an error.
pub fn path_exists_from(stat: PathStat) -> (r: Result<bool, Error>)
    ensures
        match stat {
            PathStat::Found { .. } => r == Ok::<bool, Error>(true),
            PathStat::Failed { no_such_file, message } => if no_such_file {
                r == Ok::<bool, Error>(false)
            } else {
                r == Err::<bool, Error>(Error::Remote { message })
            },
        },
{
    match stat {
        PathStat::Found { .. } => Ok(true),
        PathStat::Failed { no_such_file, message } => {
            if no_such_file {
                Ok(false)
            } else {
                Err(Error::Remote { message })
            }
        },
    }
}

} // verus!
