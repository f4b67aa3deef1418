use vstd::prelude::*;

use crate::command::{escaped_args, ArgView, Command, CommandOutput, CommandView, fresh_command};
use crate::error::Error;
use crate::level::Level;

verus! {

/// How long after a successful `apt-get update` the package list counts as fresh.
pub const UPDATE_PERIOD_SECS: u64 = 3600;

/// `apt-get update`.
pub fn update_command() -> (r: Command)
    ensures
        r@ == fresh_command(seq![ArgView::escaped("apt-get"@), ArgView::escaped("update"@)]),
{
    let argv: [&str; 2] = ["apt-get", "update"];
    let c = Command::new(&argv);
    proof {
        assert(escaped_args(argv@) =~= seq![
            ArgView::escaped("apt-get"@),
            ArgView::escaped("update"@),
        ]);
    }
    c
}

/// The query for the installation status of a package; it logs nothing
/// above `Trace` and accepts any exit code.
pub fn package_query(package: &str) -> (r: Command)
    ensures
        r@ == (CommandView {
            argv: seq![
                ArgView::escaped("dpkg-query"@),
                ArgView::escaped("--show"@),
                ArgView::escaped("--showformat=${db:Status-Status}"@),
                ArgView::escaped(package@),
            ],
            command_log_level: Level::Trace,
            stdout_log_level: Level::Trace,
            stderr_log_level: Level::Trace,
            allow_failure: true,
        }),
{
    let argv: [&str; 4] = ["dpkg-query", "--show", "--showformat=${db:Status-Status}", package];
    let c = Command::new(&argv).hide_command().hide_all_output().allow_failure();
    proof {
        assert(escaped_args(argv@) =~= seq![
            ArgView::escaped("dpkg-query"@),
            ArgView::escaped("--show"@),
            ArgView::escaped("--showformat=${db:Status-Status}"@),
            ArgView::escaped(package@),
        ]);
    }
    c
}

/// Whether the package is installed, from the output of its query: exit
/// code 0 with the status `installed` says yes, 0 with another status or 1
/// says no, and any other code is an error.
pub fn package_installed_from(output: &CommandOutput) -> (r: Result<bool, Error>)
    ensures
        output.exit_code == 0 ==> r == Ok::<bool, Error>(output.stdout@ == "installed"@),
        output.exit_code == 1 ==> r == Ok::<bool, Error>(false),
        output.exit_code != 0 && output.exit_code != 1 ==> r == Err::<bool, Error>(
            Error::UnexpectedExitCode { code: output.exit_code },
        ),
{
    if output.exit_code == 0 {
        let installed = "installed".to_owned();
        Ok(output.stdout == installed)
    } else if output.exit_code == 1 {
        Ok(false)
    } else {
        Err(Error::UnexpectedExitCode { code: output.exit_code })
    }
}

/// The packages that are not installed yet, in order.
pub open spec fn missing<'a>(packages: Seq<&'a str>, installed: Seq<bool>) -> Seq<&'a str>
    decreases packages.len(),
{
    if packages.len() == 0 {
        Seq::empty()
    } else if installed.last() {
        missing(packages.drop_last(), installed.drop_last())
    } else {
        missing(packages.drop_last(), installed.drop_last()).push(packages.last())
    }
}

/// The packages to install: those whose entry in `installed` is false.
pub fn missing_packages<'a>(packages: &[&'a str], installed: &[bool]) -> (r: Vec<&'a str>)
    requires
        packages@.len() == installed@.len(),
    ensures
        r@ == missing(packages@, installed@),
{
    let mut r: Vec<&'a str> = Vec::new();
    let mut i: usize = 0;
    while i < packages.len()
        invariant
            packages@.len() == installed@.len(),
            i <= packages@.len(),
            r@ == missing(packages@.take(i as int), installed@.take(i as int)),
        decreases packages@.len() - i,
    {
        proof {
            assert(packages@.take(i + 1).drop_last() =~= packages@.take(i as int));
            assert(installed@.take(i + 1).drop_last() =~= installed@.take(i as int));
        }
        if !installed[i] {
            r.push(packages[i]);
        }
        i += 1;
    }
    proof {
        assert(packages@.take(i as int) =~= packages@);
        assert(installed@.take(i as int) =~= installed@);
    }
    r
}

/// `apt-get install --yes` with the packages.
pub fn install_command(packages: &[&str]) -> (r: Command)
    ensures
        r@ == fresh_command(
            seq![
                ArgView::escaped("apt-get"@),
                ArgView::escaped("install"@),
                ArgView::escaped("--yes"@),
            ] + escaped_args(packages@),
        ),
{
    let argv: [&str; 3] = ["apt-get", "install", "--yes"];
    let c = Command::new(&argv).args(packages);
    proof {
        assert(escaped_args(argv@) =~= seq![
            ArgView::escaped("apt-get"@),
            ArgView::escaped("install"@),
            ArgView::escaped("--yes"@),
        ]);
    }
    c
}

/// A non-interactive `apt-get dist-upgrade --yes`.
pub fn upgrade_command() -> (r: Command)
    ensures
        r@ == fresh_command(
            seq![
                ArgView::escaped("DEBIAN_FRONTEND=noninteractive"@),
                ArgView::escaped("apt-get"@),
                ArgView::escaped("dist-upgrade"@),
                ArgView::escaped("--yes"@),
            ],
        ),
{
    let argv: [&str; 4] = ["DEBIAN_FRONTEND=noninteractive", "apt-get", "dist-upgrade", "--yes"];
    let c = Command::new(&argv);
    proof {
        assert(escaped_args(argv@) =~= seq![
            ArgView::escaped("DEBIAN_FRONTEND=noninteractive"@),
            ArgView::escaped("apt-get"@),
            ArgView::escaped("dist-upgrade"@),
            ArgView::escaped("--yes"@),
        ]);
    }
    c
}

/// What to do before work that needs a fresh package list.
#[derive(Clone, Copy, Debug, PartialEq, Eq, Structural)]
pub enum Freshness {
    /// The session already knows that the list is fresh.
    Fresh,
    /// The list was updated recently by the system: remember that, update nothing.
    MarkFresh,
    /// Run `apt-get update`, then remember that the list is fresh.
    Update,
}

/// The step that the freshness rule takes.
pub open spec fn freshness_step(marked: bool, stamp_age_secs: Option<u64>) -> Freshness {
    if marked {
        Freshness::Fresh
    } else {
        match stamp_age_secs {
            Some(a) if a < UPDATE_PERIOD_SECS => Freshness::MarkFresh,
            _ => Freshness::Update,
        }
    }
}

/// Whether the session knows the list to be fresh once the step is done.
pub open spec fn marked_after(marked: bool, step: Freshness) -> bool {
    match step {
        Freshness::Fresh => marked,
        _ => true,
    }
}

/// The freshness rule: skip if the session has marked the list fresh; else
/// if the system's update stamp is less than an hour old, mark it and skip;
/// else update. `stamp_age_secs` is the stamp's age in whole seconds, if the
/// stamp could be read.
pub fn freshness(marked: bool, stamp_age_secs: Option<u64>) -> (r: Freshness)
    ensures
        r == freshness_step(marked, stamp_age_secs),
{
    if marked {
        Freshness::Fresh
    } else {
        match stamp_age_secs {
            Some(a) if a < UPDATE_PERIOD_SECS => Freshness::MarkFresh,
            _ => Freshness::Update,
        }
    }
}

/// Once the package list has been updated in a session, or found fresh by
/// its stamp, later work in that session never updates it again: whatever
/// the stamp then says, the rule finds the list fresh.
pub proof fn lemma_no_second_update(
    marked: bool,
    first_age: Option<u64>,
    later_age: Option<u64>,
)
    ensures
        freshness_step(marked_after(marked, freshness_step(marked, first_age)), later_age)
            == Freshness::Fresh,
        freshness_step(true, later_age) == Freshness::Fresh,
{
}

} // verus!
