use vstd::prelude::*;
use vstd::string::*;

use crate::error::Error;
use crate::local::{str_views, LocalCommand, LocalCommandView};
use crate::level::Level;
use crate::session::{PathStat, Target};
use crate::text::{check_name, decimal, decimal_text, is_name, CharClass};

verus! {

/// The fixed options of the transfer: itemized changes, recursion, links,
/// permissions and times kept, compression, and extraneous files deleted.
pub open spec fn rsync_options() -> Seq<Seq<char>> {
    seq![
        "rsync"@,
        "--itemize-changes"@,
        "--recursive"@,
        "--links"@,
        "--perms"@,
        "--times"@,
        "--compress"@,
        "--delete"@,
    ]
}

/// `[user@]host:dir`, the remote end of the transfer.
pub open spec fn remote_location(t: Target, dir: Seq<char>) -> Seq<char> {
    let host = match t.user {
        Some(u) => u@ + "@"@ + t.destination@,
        None => t.destination@,
    };
    host + ":"@ + dir
}

/// The arguments of the `rsync` run that uploads `paths` into `dir`.
pub open spec fn rsync_argv(
    t: Target,
    paths: Seq<Seq<char>>,
    dir: Seq<char>,
    remote_user: Option<Seq<char>>,
) -> Seq<Seq<char>> {
    let as_user = match remote_user {
        Some(u) => seq!["--rsync-path"@, "sudo --user "@ + u + " rsync"@],
        None => Seq::empty(),
    };
    let shell = match t.port {
        Some(p) => seq!["--rsh"@, "ssh -p "@ + decimal(p as nat)],
        None => Seq::empty(),
    };
    rsync_options() + as_user + paths + shell + seq![remote_location(t, dir)]
}

/// The command that uploading `paths` into `dir` runs, given what the
/// remote file system said of `dir`; none where the upload fails first.
pub open spec fn upload_run(
    t: Target,
    paths: Seq<Seq<char>>,
    dir: Seq<char>,
    stat: PathStat,
    remote_user: Option<Seq<char>>,
) -> Option<LocalCommandView> {
    match stat {
        PathStat::Found { is_dir: Some(true) } => match remote_user {
            Some(u) if !is_name(CharClass::UserName, u) => None,
            _ => Some(
                LocalCommandView {
                    argv: rsync_argv(t, paths, dir, remote_user),
                    command_log_level: Level::Trace,
                    stdout_log_level: Level::Info,
                    stderr_log_level: Level::Error,
                    allow_failure: false,
                },
            ),
        },
        _ => None,
    }
}

/// Plans an upload of local `paths` into the remote directory `dir`, which
/// the caller has looked up on the remote file system (`stat`). The
/// directory must exist and be a directory; a `remote_user` to upload as must
/// be a name of `[A-Za-z0-9._-]+`. The result is the `rsync` command to run,
/// which reaches the host as the session does.
pub fn plan_upload(
    target: &Target,
    paths: &[&str],
    dir: &str,
    stat: PathStat,
    remote_user: Option<&str>,
) -> (r: Result<LocalCommand, Error>)
    ensures
        ({
            let user = match remote_user {
                Some(u) => Some(u@),
                None => None,
            };
            let run = upload_run(*target, str_views(paths@), dir@, stat, user);
            &&& r is Ok <==> run is Some
            &&& r matches Ok(c) ==> run == Some(c@)
        }),
        match stat {
            PathStat::Failed { message, .. } => r == Err::<LocalCommand, Error>(
                Error::Remote { message },
            ),
            PathStat::Found { is_dir: None } => r == Err::<LocalCommand, Error>(
                Error::MissingFileType,
            ),
            PathStat::Found { is_dir: Some(false) } => r matches Err(Error::NotADirectory { path })
                && path@ == dir@,
            PathStat::Found { is_dir: Some(true) } => match remote_user {
                Some(u) => !is_name(CharClass::UserName, u@) ==> (r matches Err(
                    Error::UnsafeUser { user },
                ) && user@ == u@),
                None => true,
            },
        },
{
    match stat {
        PathStat::Failed { message, .. } => {
            return Err(Error::Remote { message });
        },
        PathStat::Found { is_dir: None } => {
            return Err(Error::MissingFileType);
        },
        PathStat::Found { is_dir: Some(false) } => {
            return Err(Error::NotADirectory { path: dir.to_owned() });
        },
        PathStat::Found { is_dir: Some(true) } => {},
    }
    let options: [&str; 8] = [
        "rsync",
        "--itemize-changes",
        "--recursive",
        "--links",
        "--perms",
        "--times",
        "--compress",
        "--delete",
    ];
    let mut command = LocalCommand::new(&options).hide_command();
    proof {
        assert(str_views(options@) =~= rsync_options());
    }
    let ghost head = command@.argv;
    if let Some(u) = remote_user {
        if !check_name(CharClass::UserName, u) {
            return Err(Error::UnsafeUser { user: u.to_owned() });
        }
        let mut path = "sudo --user ".to_owned();
        path.append(u);
        path.append(" rsync");
        command = command.arg("--rsync-path").arg(path.as_str());
    }
    proof {
        assert(command@.argv =~= head + match remote_user {
            Some(u) => seq!["--rsync-path"@, "sudo --user "@ + u@ + " rsync"@],
            None => Seq::<Seq<char>>::empty(),
        });
    }
    command = command.args(paths);
    if let Some(p) = target.port {
        let mut rsh = "ssh -p ".to_owned();
        let digits = decimal_text(p as u64);
        rsh.append(digits.as_str());
        command = command.arg("--rsh").arg(rsh.as_str());
    }
    let mut location = match &target.user {
        Some(u) => {
            let mut l = u.clone();
            l.append("@");
            l.append(target.destination.as_str());
            l
        },
        None => target.destination.clone(),
    };
    location.append(":");
    location.append(dir);
    let command = command.arg(location.as_str());
    proof {
        let user = match remote_user {
            Some(u) => Some(u@),
            None => None,
        };
        assert(command@.argv =~= rsync_argv(*target, str_views(paths@), dir@, user));
    }
    Ok(command)
}

/// An upload into a path that is not a directory fails before anything is
/// transferred: no `rsync` command comes out of the plan.
pub proof fn lemma_upload_needs_directory(
    t: Target,
    paths: Seq<Seq<char>>,
    dir: Seq<char>,
    remote_user: Option<Seq<char>>,
)
    ensures
        upload_run(t, paths, dir, PathStat::Found { is_dir: Some(false) }, remote_user) is None,
{
}

} // verus!
