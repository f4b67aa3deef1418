use vstd::prelude::*;

use crate::command::{escaped_args, ArgView, Command, CommandView, fresh_command};
use crate::error::Error;
use crate::level::Level;
use crate::text::{numeral, parse_u32};

verus! {

/// The probe for a user: `id --user`, logging nothing above `Trace`.
pub fn user_probe(name: &str) -> (r: Command)
    ensures
        r@ == (CommandView {
            argv: seq![
                ArgView::escaped("id"@),
                ArgView::escaped("--user"@),
                ArgView::escaped(name@),
            ],
            command_log_level: Level::Trace,
            stdout_log_level: Level::Trace,
            stderr_log_level: Level::Trace,
            ..fresh_command(Seq::empty())
        }),
{
    let argv: [&str; 3] = ["id", "--user", name];
    let c = Command::new(&argv).hide_command().hide_all_output();
    proof {
        assert(escaped_args(argv@) =~= seq![
            ArgView::escaped("id"@),
            ArgView::escaped("--user"@),
            ArgView::escaped(name@),
        ]);
    }
    c
}

/// Whether the user exists, from the exit code of its probe: 0 says yes,
/// 1 says no, any other code is an error.
pub fn user_exists_from(code: i32) -> (r: Result<bool, Error>)
    ensures
        code == 0 ==> r == Ok::<bool, Error>(true),
        code == 1 ==> r == Ok::<bool, Error>(false),
        code != 0 && code != 1 ==> r == Err::<bool, Error>(Error::UnexpectedExitCode { code }),
{
    if code == 0 {
        Ok(true)
    } else if code == 1 {
        Ok(false)
    } else {
        Err(Error::UnexpectedExitCode { code })
    }
}

/// The command that creating a user runs, given whether the user exists:
/// none if it does, else `useradd --create-home`.
pub open spec fn create_user_plan(exists: bool, name: Seq<char>) -> Option<CommandView> {
    if exists {
        None
    } else {
        Some(
            fresh_command(
                seq![
                    ArgView::escaped("useradd"@),
                    ArgView::escaped("--create-home"@),
                    ArgView::escaped(name),
                ],
            ),
        )
    }
}

/// The command that creates a user with a home directory, unless the user
/// exists already.
pub fn create_user_command(exists: bool, name: &str) -> (r: Option<Command>)
    ensures
        match r {
            Some(c) => create_user_plan(exists, name@) == Some(c@),
            None => create_user_plan(exists, name@) is None,
        },
{
    if exists {
        return None;
    }
    let argv: [&str; 3] = ["useradd", "--create-home", name];
    let c = Command::new(&argv);
    proof {
        assert(escaped_args(argv@) =~= seq![
            ArgView::escaped("useradd"@),
            ArgView::escaped("--create-home"@),
            ArgView::escaped(name@),
        ]);
    }
    Some(c)
}

/// Creating a user twice adds it at most once, on a host whose probe reports
/// the users that exist and where `useradd` makes the user exist.
pub proof fn lemma_create_user_once(users: Set<Seq<char>>, name: Seq<char>)
    ensures
        ({
            let first = create_user_plan(users.contains(name), name);
            let after = if first is Some {
                users.insert(name)
            } else {
                users
            };
            let second = create_user_plan(after.contains(name), name);
            second is None && (first is Some ==> !users.contains(name))
        }),
{
}

/// The query for a user's numeric id; its output is logged at `Trace`.
pub fn user_id_command(name: &str) -> (r: Command)
    ensures
        r@ == (CommandView {
            argv: seq![
                ArgView::escaped("id"@),
                ArgView::escaped("--user"@),
                ArgView::escaped(name@),
            ],
            command_log_level: Level::Trace,
            stdout_log_level: Level::Trace,
            ..fresh_command(Seq::empty())
        }),
{
    let argv: [&str; 3] = ["id", "--user", name];
    let c = Command::new(&argv).hide_command().hide_stdout();
    proof {
        assert(escaped_args(argv@) =~= seq![
            ArgView::escaped("id"@),
            ArgView::escaped("--user"@),
            ArgView::escaped(name@),
        ]);
    }
    c
}

/// `s` without the whitespace at its start and end, as `str::trim` leaves it.
pub uninterp spec fn trimmed(s: Seq<char>) -> Seq<char>;

/// Relies on `str::trim`: what it leaves depends on the string alone.
#[verifier::external_body]
fn trim(s: &str) -> (r: &str)
    ensures
        r@ == trimmed(s@),
{
    s.trim()
}

/// A user id from already trimmed output: a decimal number that fits in 32 bits.
pub fn user_id_from_trimmed(text: &str) -> (r: Result<u32, Error>)
    ensures
        match numeral(text@) {
            Some(v) => if v <= u32::MAX {
                r == Ok::<u32, Error>(v as u32)
            } else {
                r == Err::<u32, Error>(Error::InvalidUserId)
            },
            None => r == Err::<u32, Error>(Error::InvalidUserId),
        },
{
    match parse_u32(text) {
        Some(v) => Ok(v),
        None => Err(Error::InvalidUserId),
    }
}

/// A user id from the output of its query, whitespace around it ignored.
pub fn user_id_from(stdout: &str) -> (r: Result<u32, Error>)
    ensures
        match numeral(trimmed(stdout@)) {
            Some(v) => if v <= u32::MAX {
                r == Ok::<u32, Error>(v as u32)
            } else {
                r == Err::<u32, Error>(Error::InvalidUserId)
            },
            None => r == Err::<u32, Error>(Error::InvalidUserId),
        },
{
    user_id_from_trimmed(trim(stdout))
}

} // verus!
